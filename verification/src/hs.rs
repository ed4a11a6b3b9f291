//! Refusals that several steps of the handshake share, and the rule for
//! resuming a session.
use vstd::prelude::*;

use crate::conn::CommonState;
use crate::dns::{opt_text, same_name, DnsName};
use crate::enums::AlertDescription;
use crate::error::{Error, ErrorView, Refusal};
use crate::server::ServerSessionValue;
use crate::suites::SupportedCipherSuite;

verus! {

/// The refusal of a peer that does not support what this side needs.
pub open spec fn not_compatible(why: Seq<char>) -> Refusal {
    Refusal {
        error: ErrorView::PeerIncompatibleError(why),
        alert: Some(AlertDescription::HandshakeFailure),
    }
}

/// The refusal of a peer for its protocol versions.
pub open spec fn wrong_version(why: Seq<char>) -> Refusal {
    Refusal {
        error: ErrorView::PeerIncompatibleError(why),
        alert: Some(AlertDescription::ProtocolVersion),
    }
}

/// The refusal of a message that makes no sense.
pub open spec fn not_decodable(why: Seq<char>) -> Refusal {
    Refusal {
        error: ErrorView::PeerMisbehavedError(why),
        alert: Some(AlertDescription::DecodeError),
    }
}

/// The refusal of a message that sets something to what it must not be.
pub open spec fn illegal(why: Seq<char>) -> Refusal {
    Refusal {
        error: ErrorView::PeerMisbehavedError(why),
        alert: Some(AlertDescription::IllegalParameter),
    }
}

/// Refuses a peer that does not support what this side needs.
pub fn incompatible(common: &mut CommonState, why: &str) -> (error: Error)
    ensures
        error@ == not_compatible(why@).error,
        final(common)@ == old(common)@.alerted(not_compatible(why@).alert),
{
    common.send_fatal_alert(AlertDescription::HandshakeFailure);
    Error::PeerIncompatibleError(why.to_string())
}

/// Refuses a peer for its protocol versions.
pub fn bad_version(common: &mut CommonState, why: &str) -> (error: Error)
    ensures
        error@ == wrong_version(why@).error,
        final(common)@ == old(common)@.alerted(wrong_version(why@).alert),
{
    common.send_fatal_alert(AlertDescription::ProtocolVersion);
    Error::PeerIncompatibleError(why.to_string())
}

/// Refuses a message that makes no sense.
pub fn decode_error(common: &mut CommonState, why: &str) -> (error: Error)
    ensures
        error@ == not_decodable(why@).error,
        final(common)@ == old(common)@.alerted(not_decodable(why@).alert),
{
    common.send_fatal_alert(AlertDescription::DecodeError);
    Error::PeerMisbehavedError(why.to_string())
}

/// Whether the session `resumedata` may go on under `suite`, for the host name
/// `sni`, with or without an extended master secret.
pub open spec fn resumable(
    suite: SupportedCipherSuite,
    sni: Option<Seq<char>>,
    using_ems: bool,
    resumedata: ServerSessionValue,
) -> bool {
    &&& resumedata.cipher_suite == suite.id()
    &&& using_ems ==> resumedata.extended_ms
    &&& opt_text(resumedata.sni) == sni
}

/// Whether the session `resumedata` may go on under `suite`, for the host name
/// `sni`, with or without an extended master secret.
///
/// The RFCs underspecify what happens on an attempt to resume under a suite
/// that was not offered or that varies; in such cases nothing is resumed.
/// RFC 6066 forbids to resume where the `server_name` extension holds a
/// different name.
pub fn can_resume(
    suite: SupportedCipherSuite,
    sni: &Option<DnsName>,
    using_ems: bool,
    resumedata: &ServerSessionValue,
) -> (resume: bool)
    ensures
        resume == resumable(suite, opt_text(*sni), using_ems, *resumedata),
{
    resumedata.cipher_suite == suite.suite() && (resumedata.extended_ms == using_ems || (
    resumedata.extended_ms && !using_ems)) && same_name(&resumedata.sni, sni)
}

/// A session is resumed only for the host name that it was made for.
pub proof fn resumption_keeps_the_name(
    suite: SupportedCipherSuite,
    sni: Option<Seq<char>>,
    using_ems: bool,
    resumedata: ServerSessionValue,
)
    requires
        sni != opt_text(resumedata.sni),
    ensures
        !resumable(suite, sni, using_ems, resumedata),
{
}

/// A session is resumed only under the cipher suite that it was made under.
pub proof fn resumption_keeps_the_suite(
    suite: SupportedCipherSuite,
    sni: Option<Seq<char>>,
    using_ems: bool,
    resumedata: ServerSessionValue,
)
    requires
        suite.id() != resumedata.cipher_suite,
    ensures
        !resumable(suite, sni, using_ems, resumedata),
{
}

/// A session without an extended master secret does not go on in a handshake
/// that uses one.
pub proof fn resumption_keeps_extended_master_secret(
    suite: SupportedCipherSuite,
    sni: Option<Seq<char>>,
    resumedata: ServerSessionValue,
)
    requires
        !resumedata.extended_ms,
    ensures
        !resumable(suite, sni, true, resumedata),
{
}

/// A session is resumed wherever nothing stands against it: its suite is the
/// chosen one, whichever version that belongs to, its host name is the one that
/// is asked for, and it has an extended master secret if the handshake uses one.
/// Nothing else that is remembered of the session counts.
pub proof fn resumption_is_granted(
    suite: SupportedCipherSuite,
    sni: Option<DnsName>,
    using_ems: bool,
    resumedata: ServerSessionValue,
)
    requires
        match suite {
            SupportedCipherSuite::Tls12(inner) => inner.suite == resumedata.cipher_suite,
            SupportedCipherSuite::Tls13(inner) => inner.suite == resumedata.cipher_suite,
        },
        match (sni, resumedata.sni) {
            (Some(asked), Some(kept)) => asked@ == kept@,
            (None, None) => true,
            _ => false,
        },
        using_ems ==> resumedata.extended_ms,
    ensures
        resumable(suite, opt_text(sni), using_ems, resumedata),
{
}

/// A session that may go on in a handshake with an extended master secret may
/// also go on in one without.
pub proof fn resumption_needs_no_more_without_extended_master_secret(
    suite: SupportedCipherSuite,
    sni: Option<Seq<char>>,
    resumedata: ServerSessionValue,
)
    requires
        resumable(suite, sni, true, resumedata),
    ensures
        resumable(suite, sni, false, resumedata),
{
}

/// Two sessions that agree in the suite, the host name and the extended master
/// secret are resumed alike.
pub proof fn resumption_heeds_nothing_else(
    suite: SupportedCipherSuite,
    sni: Option<Seq<char>>,
    using_ems: bool,
    a: ServerSessionValue,
    b: ServerSessionValue,
)
    requires
        a.cipher_suite == b.cipher_suite,
        a.sni == b.sni,
        a.extended_ms == b.extended_ms,
    ensures
        resumable(suite, sni, using_ems, a) == resumable(suite, sni, using_ems, b),
{
}

} // verus!
