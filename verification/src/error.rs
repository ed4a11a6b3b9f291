//! Why a handshake is given up.
use vstd::prelude::*;

use crate::enums::{AlertDescription, ContentType, HandshakeType};

verus! {

/// The reason for giving up a connection.
#[allow(inconsistent_fields)]
#[derive(Clone, Debug, PartialEq, Eq)]
pub enum Error {
    /// A message of a kind that does not belong here.
    InappropriateMessage { expect_types: Vec<ContentType>, got_type: ContentType },
    /// A handshake message of a kind that does not belong here.
    InappropriateHandshakeMessage { expect_types: Vec<HandshakeType>, got_type: HandshakeType },
    /// The peer does not support what this side needs.
    PeerIncompatibleError(String),
    /// The peer broke the protocol.
    PeerMisbehavedError(String),
    /// Both sides use ALPN, and have no protocol in common.
    NoApplicationProtocol,
    /// No random bytes could be had.
    FailedToGetRandomBytes,
    /// Anything else.
    General(String),
}

/// An [`Error`] with its texts and lists as sequences.
#[allow(inconsistent_fields)]
#[verifier::ext_equal]
pub enum ErrorView {
    InappropriateMessage { expect_types: Seq<ContentType>, got_type: ContentType },
    InappropriateHandshakeMessage { expect_types: Seq<HandshakeType>, got_type: HandshakeType },
    PeerIncompatibleError(Seq<char>),
    PeerMisbehavedError(Seq<char>),
    NoApplicationProtocol,
    FailedToGetRandomBytes,
    General(Seq<char>),
}

impl View for Error {
    type V = ErrorView;

    open spec fn view(&self) -> ErrorView {
        match *self {
            Error::InappropriateMessage {
                expect_types,
                got_type,
            } => ErrorView::InappropriateMessage { expect_types: expect_types@, got_type },
            Error::InappropriateHandshakeMessage {
                expect_types,
                got_type,
            } => ErrorView::InappropriateHandshakeMessage { expect_types: expect_types@, got_type },
            Error::PeerIncompatibleError(why) => ErrorView::PeerIncompatibleError(why@),
            Error::PeerMisbehavedError(why) => ErrorView::PeerMisbehavedError(why@),
            Error::NoApplicationProtocol => ErrorView::NoApplicationProtocol,
            Error::FailedToGetRandomBytes => ErrorView::FailedToGetRandomBytes,
            Error::General(why) => ErrorView::General(why@),
        }
    }
}

/// A refusal: the error that ends the handshake here, and the fatal alert, if
/// any, by which the peer hears of it.
#[verifier::ext_equal]
pub struct Refusal {
    pub error: ErrorView,
    pub alert: Option<AlertDescription>,
}

} // verus!
