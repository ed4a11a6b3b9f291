//! The transcript of a handshake.
//!
//! The transcript is kept as the bytes that go into its hash, together with the
//! hash function once that is settled.
use vstd::prelude::*;

use crate::enums::HashAlgorithm;
use crate::seqs::{copy_bytes, opt_bytes};

verus! {

/// A transcript whose hash function is not settled yet.
#[derive(Clone, Debug)]
pub struct HandshakeHashBuffer {
    pub buffer: Vec<u8>,
    /// Whether the messages must be kept, for a client that may sign them.
    pub client_auth_enabled: bool,
}

/// A transcript under a hash function.
#[derive(Clone, Debug)]
pub struct HandshakeHash {
    pub algorithm: HashAlgorithm,
    /// What has gone into the hash.
    pub hashed: Vec<u8>,
    /// The messages themselves, where they must be kept.
    pub client_auth: Option<Vec<u8>>,
}

/// A [`HandshakeHash`] with its bytes as sequences.
#[verifier::ext_equal]
pub struct HandshakeHashView {
    pub algorithm: HashAlgorithm,
    pub hashed: Seq<u8>,
    pub client_auth: Option<Seq<u8>>,
}

impl View for HandshakeHash {
    type V = HandshakeHashView;

    open spec fn view(&self) -> HandshakeHashView {
        HandshakeHashView {
            algorithm: self.algorithm,
            hashed: self.hashed@,
            client_auth: opt_bytes(self.client_auth),
        }
    }
}

impl HandshakeHashBuffer {
    pub fn new() -> (buffer: HandshakeHashBuffer)
        ensures
            buffer.buffer@ == Seq::<u8>::empty(),
            !buffer.client_auth_enabled,
    {
        HandshakeHashBuffer { buffer: Vec::new(), client_auth_enabled: false }
    }

    /// Keeps the messages, for a client that may sign them.
    pub fn set_client_auth_enabled(&mut self)
        ensures
            final(self).client_auth_enabled,
            final(self).buffer == old(self).buffer,
    {
        self.client_auth_enabled = true;
    }

    /// The transcript after its hash function has been settled.
    pub open spec fn started(self, algorithm: HashAlgorithm) -> HandshakeHashView {
        HandshakeHashView {
            algorithm,
            hashed: self.buffer@,
            client_auth: if self.client_auth_enabled {
                Some(self.buffer@)
            } else {
                None
            },
        }
    }

    /// Settles the hash function.
    pub fn start_hash(self, algorithm: HashAlgorithm) -> (hash: HandshakeHash)
        ensures
            hash@ == self.started(algorithm),
    {
        let client_auth = if self.client_auth_enabled {
            Some(copy_bytes(&self.buffer))
        } else {
            None
        };
        HandshakeHash { algorithm, hashed: self.buffer, client_auth }
    }
}

/// A transcript before or after its hash function is settled.
#[derive(Clone, Debug)]
pub enum HandshakeHashOrBuffer {
    Buffer(HandshakeHashBuffer),
    Hash(HandshakeHash),
}

impl HandshakeHashOrBuffer {
    /// The transcript under `algorithm`; nothing where another hash function
    /// has been settled before.
    pub open spec fn under(self, algorithm: HashAlgorithm) -> Option<HandshakeHashView> {
        match self {
            HandshakeHashOrBuffer::Buffer(inner) => Some(inner.started(algorithm)),
            HandshakeHashOrBuffer::Hash(inner) => if inner.algorithm == algorithm {
                Some(inner@)
            } else {
                None
            },
        }
    }
}

} // verus!
