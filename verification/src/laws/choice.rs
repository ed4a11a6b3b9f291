//! What is chosen of what the two sides have: the version, the cipher suite and
//! the signature schemes.
use vstd::prelude::*;

use crate::client_hello::{fitting, fitting_schemes};
use crate::enums::{AlertDescription, ProtocolVersion, SignatureAlgorithm, SignatureScheme};
use crate::error::{ErrorView, Refusal};
use crate::expect::{suitable_suites, suite_choice, version_choice};
use crate::msgs::ClientHelloPayload;
use crate::seqs::{
    both, filter_members, find_first, find_first_filtered, find_first_meaning,
};
use crate::server::ServerConfig;
use crate::suites::{
    belonging_to, known_to, offered_in, scheme_fits, usable_with, with_id, SupportedCipherSuite,
};

verus! {

// What the server has

/// A suite of TLS 1.2 can be used with the keys that can sign under one of its
/// schemes, at whatever place of its list; one of TLS 1.3 with any key.
pub proof fn suite_properties(suite: SupportedCipherSuite, alg: SignatureAlgorithm)
    ensures
        match suite {
            SupportedCipherSuite::Tls12(inner) => {
                &&& suite.id() == inner.suite
                &&& suite.hash() == inner.hash
                &&& suite.of_version() == ProtocolVersion::TLSv1_2
                &&& suite.usable_for(alg) <==> exists|i: int|
                    0 <= i < inner.sign@.len() && (#[trigger] inner.sign@[i]).algorithm() == alg
            },
            SupportedCipherSuite::Tls13(inner) => {
                &&& suite.id() == inner.suite
                &&& suite.hash() == inner.hash
                &&& suite.of_version() == ProtocolVersion::TLSv1_3
                &&& suite.usable_for(alg)
            },
        },
{
}

/// A server has a version exactly if it is enabled and one of the configured
/// suites, at whatever place, belongs to it. It has no version but TLS 1.2 and
/// TLS 1.3.
pub proof fn supported_versions<R>(config: ServerConfig<R>, version: ProtocolVersion)
    ensures
        config.supports(ProtocolVersion::TLSv1_2) <==> config.versions.tls12 && exists|i: int|
            0 <= i < config.cipher_suites@.len() && #[trigger] config.cipher_suites@[i] is Tls12,
        config.supports(ProtocolVersion::TLSv1_3) <==> config.versions.tls13 && exists|i: int|
            0 <= i < config.cipher_suites@.len() && #[trigger] config.cipher_suites@[i] is Tls13,
        config.supports(version) ==> version is TLSv1_2 || version is TLSv1_3,
{
    if config.supports(ProtocolVersion::TLSv1_2) {
        let i = choose|i: int|
            0 <= i < config.cipher_suites@.len() && (#[trigger] config.cipher_suites@[i]).of_version()
                == ProtocolVersion::TLSv1_2;
        assert(config.cipher_suites@[i] is Tls12);
    }
    if config.supports(ProtocolVersion::TLSv1_3) {
        let i = choose|i: int|
            0 <= i < config.cipher_suites@.len() && (#[trigger] config.cipher_suites@[i]).of_version()
                == ProtocolVersion::TLSv1_3;
        assert(config.cipher_suites@[i] is Tls13);
    }
    if exists|i: int|
        0 <= i < config.cipher_suites@.len() && #[trigger] config.cipher_suites@[i] is Tls12 {
        let i = choose|i: int|
            0 <= i < config.cipher_suites@.len() && #[trigger] config.cipher_suites@[i] is Tls12;
        assert(config.cipher_suites@[i].of_version() == ProtocolVersion::TLSv1_2);
    }
    if exists|i: int|
        0 <= i < config.cipher_suites@.len() && #[trigger] config.cipher_suites@[i] is Tls13 {
        let i = choose|i: int|
            0 <= i < config.cipher_suites@.len() && #[trigger] config.cipher_suites@[i] is Tls13;
        assert(config.cipher_suites@[i].of_version() == ProtocolVersion::TLSv1_3);
    }
}

// The version

/// TLS 1.2 is chosen wherever both sides have it and do not both have TLS 1.3,
/// at whatever place of the client's list it stands. Only over QUIC it is not.
pub proof fn tls12_wherever_it_is_the_best_in_common<R>(
    config: ServerConfig<R>,
    hello: ClientHelloPayload,
    versions: Seq<ProtocolVersion>,
    k: int,
)
    requires
        hello.versions() == Some(versions),
        0 <= k < versions.len(),
        versions[k] == ProtocolVersion::TLSv1_2,
        config.supports(ProtocolVersion::TLSv1_2),
        !config.supports(ProtocolVersion::TLSv1_3) || forall|j: int|
            0 <= j < versions.len() ==> #[trigger] versions[j] != ProtocolVersion::TLSv1_3,
    ensures
        version_choice(config, hello, false) == Ok::<ProtocolVersion, Refusal>(
            ProtocolVersion::TLSv1_2,
        ),
        version_choice(config, hello, true) == Err::<ProtocolVersion, Refusal>(
            Refusal {
                error: ErrorView::PeerIncompatibleError(
                    "Expecting QUIC connection, but client does not support TLSv1_3"@,
                ),
                alert: Some(AlertDescription::ProtocolVersion),
            },
        ),
{
    assert(versions.contains(ProtocolVersion::TLSv1_2));
}

/// TLS 1.3 is chosen wherever both sides have it, at whatever place of the
/// client's list it stands, over QUIC or not.
pub proof fn tls13_at_any_place<R>(
    config: ServerConfig<R>,
    hello: ClientHelloPayload,
    versions: Seq<ProtocolVersion>,
    k: int,
    quic: bool,
)
    requires
        hello.versions() == Some(versions),
        0 <= k < versions.len(),
        versions[k] == ProtocolVersion::TLSv1_3,
        config.supports(ProtocolVersion::TLSv1_3),
    ensures
        version_choice(config, hello, quic) == Ok::<ProtocolVersion, Refusal>(
            ProtocolVersion::TLSv1_3,
        ),
{
    assert(versions.contains(ProtocolVersion::TLSv1_3));
}

/// A client that lists its versions is refused for them where no version that
/// it lists is one of the server's.
pub proof fn no_version_in_common<R>(
    config: ServerConfig<R>,
    hello: ClientHelloPayload,
    versions: Seq<ProtocolVersion>,
    quic: bool,
)
    requires
        hello.versions() == Some(versions),
        forall|j: int| 0 <= j < versions.len() ==> !config.supports(#[trigger] versions[j]),
    ensures
        version_choice(config, hello, quic) == Err::<ProtocolVersion, Refusal>(
            Refusal {
                error: ErrorView::PeerIncompatibleError("TLS1.2 not offered/enabled"@),
                alert: Some(AlertDescription::ProtocolVersion),
            },
        ),
{
    if versions.contains(ProtocolVersion::TLSv1_3) {
        let j = choose|j: int|
            0 <= j < versions.len() && versions[j] == ProtocolVersion::TLSv1_3;
        assert(!config.supports(versions[j]));
    }
    if versions.contains(ProtocolVersion::TLSv1_2) {
        let j = choose|j: int|
            0 <= j < versions.len() && versions[j] == ProtocolVersion::TLSv1_2;
        assert(!config.supports(versions[j]));
    }
}

/// Whether a client says that it has `version`: it lists it or, without a list,
/// its hello is of TLS 1.2 or later and `version` is TLS 1.2.
pub open spec fn client_has(hello: ClientHelloPayload, version: ProtocolVersion) -> bool {
    match hello.versions() {
        Some(versions) => exists|j: int|
            0 <= j < versions.len() && #[trigger] versions[j] == version,
        None => version is TLSv1_2 && hello.client_version.code() >= 0x0303,
    }
}

/// Without QUIC, a version is refused only where the two sides have none in
/// common; over QUIC, exactly where they do not both have TLS 1.3.
pub proof fn versions_are_refused_for_want_of_a_common_one<R>(
    config: ServerConfig<R>,
    hello: ClientHelloPayload,
    version: ProtocolVersion,
)
    ensures
        version_choice(config, hello, false) is Err ==> !(config.supports(version) && client_has(
            hello,
            version,
        )),
        version_choice(config, hello, true) is Err <==> !(config.supports(ProtocolVersion::TLSv1_3)
            && client_has(hello, ProtocolVersion::TLSv1_3)),
{
    if let Some(versions) = hello.versions() {
        if versions.contains(ProtocolVersion::TLSv1_3) {
            let j = choose|j: int|
                0 <= j < versions.len() && versions[j] == ProtocolVersion::TLSv1_3;
            assert(versions[j] == ProtocolVersion::TLSv1_3);
        }
        assert(forall|j: int| 0 <= j < versions.len() ==> versions.contains(#[trigger] versions[j]));
    }
}

/// A client without a list of versions goes on with TLS 1.2, unless its hello is
/// of an older version, or TLS 1.3 is all that the server has, or QUIC is used.
pub proof fn version_without_a_list<R>(
    config: ServerConfig<R>,
    hello: ClientHelloPayload,
    quic: bool,
)
    requires
        hello.versions() is None,
    ensures
        hello.client_version.code() < 0x0303 ==> version_choice(config, hello, quic) == Err::<
            ProtocolVersion,
            Refusal,
        >(
            Refusal {
                error: ErrorView::PeerIncompatibleError("Client does not support TLSv1_2"@),
                alert: Some(AlertDescription::ProtocolVersion),
            },
        ),
        hello.client_version.code() >= 0x0303 && config.supports(ProtocolVersion::TLSv1_3)
            && !config.supports(ProtocolVersion::TLSv1_2) ==> version_choice(config, hello, quic)
            == Err::<ProtocolVersion, Refusal>(
            Refusal {
                error: ErrorView::PeerIncompatibleError(
                    "Server requires TLS1.3, but client omitted versions ext"@,
                ),
                alert: Some(AlertDescription::ProtocolVersion),
            },
        ),
        hello.client_version.code() >= 0x0303 && (config.supports(ProtocolVersion::TLSv1_2)
            || !config.supports(ProtocolVersion::TLSv1_3)) ==> version_choice(config, hello, quic)
            == (if quic {
            Err::<ProtocolVersion, Refusal>(
                Refusal {
                    error: ErrorView::PeerIncompatibleError(
                        "Expecting QUIC connection, but client does not support TLSv1_3"@,
                    ),
                    alert: Some(AlertDescription::ProtocolVersion),
                },
            )
        } else {
            Ok::<ProtocolVersion, Refusal>(ProtocolVersion::TLSv1_2)
        }),
{
}

// The cipher suite

/// Of several configured suites with the same identifier, the first that the key
/// can sign for in the settled version is chosen.
pub proof fn first_of_suites_with_one_identifier<R>(
    config: ServerConfig<R>,
    hello: ClientHelloPayload,
    alg: SignatureAlgorithm,
    version: ProtocolVersion,
)
    ensures
        suite_choice(config, hello, alg, version) matches Some(suite) ==> exists|i: int|
            #![trigger config.cipher_suites@[i]]
            0 <= i < config.cipher_suites@.len() && config.cipher_suites@[i] == suite && (forall|
                j: int,
            |
                0 <= j < i && (#[trigger] config.cipher_suites@[j]).id() == suite.id()
                    && config.cipher_suites@[j].of_version() == version
                    ==> !config.cipher_suites@[j].usable_for(alg)),
{
    let all = config.cipher_suites@;
    let client = hello.cipher_suites@;
    let suitable = suitable_suites(config, alg, version);
    if suite_choice(config, hello, alg, version) is Some {
        let suite = suite_choice(config, hello, alg, version)->0;
        let last = if config.ignore_client_order {
            offered_in(client)
        } else {
            with_id(find_first(client, known_to(suitable))->0)
        };
        find_first_meaning(suitable, last);
        let in_version = both(belonging_to(version), last);
        let wanted = both(usable_with(alg), in_version);
        find_first_filtered(all.filter(usable_with(alg)), belonging_to(version), last);
        find_first_filtered(all, usable_with(alg), in_version);
        find_first_meaning(all, wanted);
        let i = choose|i: int|
            #![trigger all[i]]
            0 <= i < all.len() && all[i] == suite && wanted(suite) && (forall|j: int|
                0 <= j < i ==> !wanted(#[trigger] all[j]));
        assert(all[i] == suite);
        assert forall|j: int|
            0 <= j < i && (#[trigger] all[j]).id() == suite.id() && all[j].of_version()
                == version implies !all[j].usable_for(alg) by {
            assert(!wanted(all[j]));
        }
    }
}

// Signature schemes

/// The schemes that a certificate is chosen by stand in the client's order, as
/// often as the client lists them: they are what is left of the client's list
/// without those for which no suite of both sides can be used.
pub proof fn schemes_keep_the_clients_order(
    hello: ClientHelloPayload,
    supported: Seq<SupportedCipherSuite>,
    fits: spec_fn(SignatureScheme) -> bool,
)
    requires
        hello.signature_schemes() is Some,
        forall|scheme: SignatureScheme| #[trigger]
            fits(scheme) <==> exists|i: int|
                #![trigger supported[i]]
                0 <= i < supported.len() && hello.cipher_suites@.contains(supported[i].id())
                    && supported[i].usable_for(scheme.algorithm()),
    ensures
        fitting_schemes(hello, supported) == hello.signature_schemes()->0.filter(fits),
{
    let client = hello.cipher_suites@;
    let both_have = supported.filter(offered_in(client));
    assert forall|scheme: SignatureScheme| #[trigger] fits(scheme) == fitting(both_have)(scheme) by {
        if scheme_fits(scheme, both_have) {
            let k = choose|k: int|
                0 <= k < both_have.len() && (#[trigger] both_have[k]).usable_for(
                    scheme.algorithm(),
                );
            filter_members(supported, offered_in(client), both_have[k]);
            assert(both_have.contains(both_have[k]));
            let i = choose|i: int| 0 <= i < supported.len() && supported[i] == both_have[k];
            assert(client.contains(supported[i].id()));
            assert(fits(scheme));
        }
        if fits(scheme) {
            let i = choose|i: int|
                #![trigger supported[i]]
                0 <= i < supported.len() && client.contains(supported[i].id())
                    && supported[i].usable_for(scheme.algorithm());
            filter_members(supported, offered_in(client), supported[i]);
            let k = choose|k: int| 0 <= k < both_have.len() && both_have[k] == supported[i];
            assert(both_have[k].usable_for(scheme.algorithm()));
        }
    }
    assert(fits =~= fitting(both_have));
}

} // verus!
