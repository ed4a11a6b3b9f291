//! Cipher suites, and the choice of one.
use vstd::prelude::*;

use crate::enums::{
    CipherSuite, HashAlgorithm, ProtocolVersion, SignatureAlgorithm, SignatureScheme,
};
use crate::seqs::{filter_step, find_first, find_first_at, find_first_none};

verus! {

/// A cipher suite of TLS 1.3, which leaves the certificate's key open.
#[derive(Clone, Copy, Debug, PartialEq, Eq)]
pub struct Tls13CipherSuite {
    pub suite: CipherSuite,
    pub hash: HashAlgorithm,
}

/// A cipher suite of TLS 1.2, which fixes how the server signs.
#[derive(Clone, Copy, Debug, PartialEq, Eq)]
pub struct Tls12CipherSuite {
    pub suite: CipherSuite,
    pub hash: HashAlgorithm,
    /// The schemes under which the server may sign.
    pub sign: &'static [SignatureScheme],
}

/// A cipher suite that this server can use.
#[derive(Clone, Copy, Debug, PartialEq, Eq)]
pub enum SupportedCipherSuite {
    Tls12(Tls12CipherSuite),
    Tls13(Tls13CipherSuite),
}

impl SupportedCipherSuite {
    /// The suite that this is.
    pub open spec fn id(self) -> CipherSuite {
        match self {
            SupportedCipherSuite::Tls12(inner) => inner.suite,
            SupportedCipherSuite::Tls13(inner) => inner.suite,
        }
    }

    /// The hash function of this suite.
    pub open spec fn hash(self) -> HashAlgorithm {
        match self {
            SupportedCipherSuite::Tls12(inner) => inner.hash,
            SupportedCipherSuite::Tls13(inner) => inner.hash,
        }
    }

    /// The version that this suite belongs to.
    pub open spec fn of_version(self) -> ProtocolVersion {
        match self {
            SupportedCipherSuite::Tls12(_) => ProtocolVersion::TLSv1_2,
            SupportedCipherSuite::Tls13(_) => ProtocolVersion::TLSv1_3,
        }
    }

    /// Whether a server whose key is of kind `alg` can use this suite.
    pub open spec fn usable_for(self, alg: SignatureAlgorithm) -> bool {
        match self {
            SupportedCipherSuite::Tls12(inner) => exists|i: int|
                0 <= i < inner.sign@.len() && (#[trigger] inner.sign@[i]).algorithm() == alg,
            SupportedCipherSuite::Tls13(_) => true,
        }
    }

    pub fn suite(&self) -> (id: CipherSuite)
        ensures
            id == self.id(),
    {
        match self {
            SupportedCipherSuite::Tls12(inner) => inner.suite,
            SupportedCipherSuite::Tls13(inner) => inner.suite,
        }
    }

    pub fn hash_algorithm(&self) -> (hash: HashAlgorithm)
        ensures
            hash == self.hash(),
    {
        match self {
            SupportedCipherSuite::Tls12(inner) => inner.hash,
            SupportedCipherSuite::Tls13(inner) => inner.hash,
        }
    }

    pub fn version(&self) -> (version: ProtocolVersion)
        ensures
            version == self.of_version(),
    {
        match self {
            SupportedCipherSuite::Tls12(_) => ProtocolVersion::TLSv1_2,
            SupportedCipherSuite::Tls13(_) => ProtocolVersion::TLSv1_3,
        }
    }

    /// Whether a server whose key is of kind `alg` can use this suite.
    pub fn usable_for_signature_algorithm(&self, alg: SignatureAlgorithm) -> (usable: bool)
        ensures
            usable == self.usable_for(alg),
    {
        match self {
            SupportedCipherSuite::Tls13(_) => true,
            SupportedCipherSuite::Tls12(inner) => {
                let sign: &[SignatureScheme] = inner.sign;
                let mut i: usize = 0;
                while i < sign.len()
                    invariant
                        i <= sign@.len(),
                        *self == SupportedCipherSuite::Tls12(*inner),
                        sign@ == inner.sign@,
                        forall|j: int| 0 <= j < i ==> (#[trigger] sign@[j]).algorithm() != alg,
                    decreases sign@.len() - i,
                {
                    if sign[i].sign() == alg {
                        return true;
                    }
                    i = i + 1;
                }
                false
            },
        }
    }
}

/// The suites that a server with a key of kind `alg` can use.
pub open spec fn usable_with(alg: SignatureAlgorithm) -> spec_fn(SupportedCipherSuite) -> bool {
    |suite: SupportedCipherSuite| suite.usable_for(alg)
}

/// The suites of one version.
pub open spec fn belonging_to(version: ProtocolVersion) -> spec_fn(SupportedCipherSuite) -> bool {
    |suite: SupportedCipherSuite| suite.of_version() == version
}

/// The suites that are in a client's list.
pub open spec fn offered_in(client: Seq<CipherSuite>) -> spec_fn(SupportedCipherSuite) -> bool {
    |suite: SupportedCipherSuite| client.contains(suite.id())
}

/// The suites with a given identifier.
pub open spec fn with_id(id: CipherSuite) -> spec_fn(SupportedCipherSuite) -> bool {
    |suite: SupportedCipherSuite| suite.id() == id
}

/// The identifiers of which a server has a suite.
pub open spec fn known_to(server: Seq<SupportedCipherSuite>) -> spec_fn(CipherSuite) -> bool {
    |id: CipherSuite| exists|i: int| 0 <= i < server.len() && (#[trigger] server[i]).id() == id
}

/// The first suite of the server's list that the client offers.
pub open spec fn server_choice(
    client: Seq<CipherSuite>,
    server: Seq<SupportedCipherSuite>,
) -> Option<SupportedCipherSuite> {
    find_first(server, offered_in(client))
}

/// The server's suite for the first entry of the client's list that the server has.
pub open spec fn client_choice(
    client: Seq<CipherSuite>,
    server: Seq<SupportedCipherSuite>,
) -> Option<SupportedCipherSuite> {
    match find_first(client, known_to(server)) {
        Some(id) => find_first(server, with_id(id)),
        None => None,
    }
}

/// Whether some suite in `suites` lets the server sign under `scheme`.
pub open spec fn scheme_fits(
    scheme: SignatureScheme,
    suites: Seq<SupportedCipherSuite>,
) -> bool {
    exists|i: int| 0 <= i < suites.len() && (#[trigger] suites[i]).usable_for(scheme.algorithm())
}

/// Whether `suites` holds `suite`.
pub fn holds_suite(suites: &Vec<CipherSuite>, suite: CipherSuite) -> (found: bool)
    ensures
        found == suites@.contains(suite),
{
    let mut i: usize = 0;
    while i < suites.len()
        invariant
            i <= suites@.len(),
            forall|j: int| 0 <= j < i ==> suites@[j] != suite,
        decreases suites@.len() - i,
    {
        if suites[i] == suite {
            assert(suites@[i as int] == suite);
            return true;
        }
        i = i + 1;
    }
    false
}

/// The suites of `all` that a server with a key of kind `alg` can use, in order.
pub fn reduce_given_sigalg(
    all: &Vec<SupportedCipherSuite>,
    alg: SignatureAlgorithm,
) -> (kept: Vec<SupportedCipherSuite>)
    ensures
        kept@ == all@.filter(usable_with(alg)),
{
    let mut kept: Vec<SupportedCipherSuite> = Vec::new();
    let mut i: usize = 0;
    proof {
        reveal(Seq::filter);
        assert(all@.take(0) =~= Seq::empty());
    }
    while i < all.len()
        invariant
            i <= all@.len(),
            kept@ == all@.take(i as int).filter(usable_with(alg)),
        decreases all@.len() - i,
    {
        proof {
            filter_step(all@, usable_with(alg), i as int);
        }
        let suite = all[i];
        if suite.usable_for_signature_algorithm(alg) {
            kept.push(suite);
        }
        i = i + 1;
    }
    assert(all@.take(all@.len() as int) =~= all@);
    kept
}

/// The suites of `all` that belong to `version`, in order.
pub fn reduce_given_version(
    all: &Vec<SupportedCipherSuite>,
    version: ProtocolVersion,
) -> (kept: Vec<SupportedCipherSuite>)
    ensures
        kept@ == all@.filter(belonging_to(version)),
{
    let mut kept: Vec<SupportedCipherSuite> = Vec::new();
    let mut i: usize = 0;
    proof {
        reveal(Seq::filter);
        assert(all@.take(0) =~= Seq::empty());
    }
    while i < all.len()
        invariant
            i <= all@.len(),
            kept@ == all@.take(i as int).filter(belonging_to(version)),
        decreases all@.len() - i,
    {
        proof {
            filter_step(all@, belonging_to(version), i as int);
        }
        let suite = all[i];
        if suite.version() == version {
            kept.push(suite);
        }
        i = i + 1;
    }
    assert(all@.take(all@.len() as int) =~= all@);
    kept
}

/// The suites of `all` that are in the client's list, in order.
pub fn reduce_to_offered(
    all: &[SupportedCipherSuite],
    client: &Vec<CipherSuite>,
) -> (kept: Vec<SupportedCipherSuite>)
    ensures
        kept@ == all@.filter(offered_in(client@)),
{
    let mut kept: Vec<SupportedCipherSuite> = Vec::new();
    let mut i: usize = 0;
    proof {
        reveal(Seq::filter);
        assert(all@.take(0) =~= Seq::empty());
    }
    while i < all.len()
        invariant
            i <= all@.len(),
            kept@ == all@.take(i as int).filter(offered_in(client@)),
        decreases all@.len() - i,
    {
        proof {
            filter_step(all@, offered_in(client@), i as int);
        }
        let suite = all[i];
        if holds_suite(client, suite.suite()) {
            kept.push(suite);
        }
        i = i + 1;
    }
    assert(all@.take(all@.len() as int) =~= all@);
    kept
}

/// The first suite of the server's list that the client offers.
pub fn choose_ciphersuite_preferring_server(
    client: &Vec<CipherSuite>,
    server: &Vec<SupportedCipherSuite>,
) -> (chosen: Option<SupportedCipherSuite>)
    ensures
        chosen == server_choice(client@, server@),
{
    let mut i: usize = 0;
    while i < server.len()
        invariant
            i <= server@.len(),
            forall|j: int| 0 <= j < i ==> !offered_in(client@)(#[trigger] server@[j]),
        decreases server@.len() - i,
    {
        if holds_suite(client, server[i].suite()) {
            proof {
                find_first_at(server@, offered_in(client@), i as int);
            }
            return Some(server[i]);
        }
        i = i + 1;
    }
    proof {
        find_first_none(server@, offered_in(client@));
    }
    None
}

/// The first suite of `server` with identifier `id`.
fn find_suite(server: &Vec<SupportedCipherSuite>, id: CipherSuite) -> (found: Option<
    SupportedCipherSuite,
>)
    ensures
        found == find_first(server@, with_id(id)),
        found is Some <==> known_to(server@)(id),
{
    let mut i: usize = 0;
    while i < server.len()
        invariant
            i <= server@.len(),
            forall|j: int| 0 <= j < i ==> !with_id(id)(#[trigger] server@[j]),
        decreases server@.len() - i,
    {
        if server[i].suite() == id {
            proof {
                find_first_at(server@, with_id(id), i as int);
                assert(server@[i as int].id() == id);
            }
            return Some(server[i]);
        }
        i = i + 1;
    }
    proof {
        find_first_none(server@, with_id(id));
    }
    None
}

/// The server's suite for the first entry of the client's list that the server has.
pub fn choose_ciphersuite_preferring_client(
    client: &Vec<CipherSuite>,
    server: &Vec<SupportedCipherSuite>,
) -> (chosen: Option<SupportedCipherSuite>)
    ensures
        chosen == client_choice(client@, server@),
{
    let mut i: usize = 0;
    while i < client.len()
        invariant
            i <= client@.len(),
            forall|j: int| 0 <= j < i ==> !known_to(server@)(#[trigger] client@[j]),
        decreases client@.len() - i,
    {
        let found = find_suite(server, client[i]);
        if found.is_some() {
            proof {
                find_first_at(client@, known_to(server@), i as int);
            }
            return found;
        }
        i = i + 1;
    }
    proof {
        find_first_none(client@, known_to(server@));
    }
    None
}

/// Whether some suite in `suites` lets the server sign under `scheme`.
pub fn compatible_sigscheme_for_suites(
    scheme: SignatureScheme,
    suites: &Vec<SupportedCipherSuite>,
) -> (fits: bool)
    ensures
        fits == scheme_fits(scheme, suites@),
{
    let alg = scheme.sign();
    let mut i: usize = 0;
    while i < suites.len()
        invariant
            i <= suites@.len(),
            alg == scheme.algorithm(),
            forall|j: int| 0 <= j < i ==> !(#[trigger] suites@[j]).usable_for(alg),
        decreases suites@.len() - i,
    {
        if suites[i].usable_for_signature_algorithm(alg) {
            return true;
        }
        i = i + 1;
    }
    false
}

} // verus!
